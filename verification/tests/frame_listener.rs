use libfreenect2_rs::error::{ErrorKind, NativeError};
use libfreenect2_rs::float_bits::FloatBits;
use libfreenect2_rs::frame::{Frame, FrameFormat, Freenect2Frame, OwnedFrame};
use libfreenect2_rs::frame_listener::{contain_panic, report, FrameListener, FrameMap, MultiFrameListener};
use libfreenect2_rs::frame_type::FrameType;

fn zero() -> FloatBits {
    FloatBits::from_bits(0)
}

fn native_frame(width: usize, height: usize, bytes_per_pixel: usize, data: Vec<u8>) -> Frame<'static> {
    let data: &'static [u8] = Box::leak(data.into_boxed_slice());
    Frame::new(width, height, bytes_per_pixel, data, 0, 0, zero(), zero(), zero(), 0, FrameFormat::Raw)
        .unwrap()
}

#[test]
fn test_create_frame_listener() {
    let _listener = FrameListener::new(|_type: FrameType, _frame: Frame<'static>| Ok(()));
}

#[test]
fn test_call_frame_listener() {
    let listener = FrameListener::new(|ty: FrameType, frame: Frame<'static>| {
        assert_eq!(ty, FrameType::Color);
        assert_eq!(frame.width(), 1);
        assert_eq!(frame.height(), 2);
        assert_eq!(frame.bytes_per_pixel(), 2);
        assert_eq!(frame.raw_data(), [1, 2, 3, 4]);

        Ok(())
    });

    let data = vec![1, 2, 3, 4];
    let res = listener.on_new_frame(FrameType::Color, native_frame(1, 2, 2, data));
    assert!(res.is_empty());
}

#[test]
fn test_call_throwing_frame_listener() {
    let listener =
        FrameListener::new(|_: FrameType, _: Frame<'static>| Err("Test".to_string()));

    let data = vec![1, 2, 3, 4];
    let res = listener.on_new_frame(FrameType::Color, native_frame(1, 2, 2, data));

    assert!(!res.is_empty());
    assert!(res.contains("Test"))
}

#[test]
fn each_call_stands_for_itself() {
    let listener = FrameListener::new(|ty: FrameType, _: Frame<'static>| match ty {
        FrameType::Ir => Err("no infrared".to_string()),
        _ => Ok(()),
    });
    assert_eq!(listener.on_new_frame(FrameType::Ir, native_frame(1, 1, 1, vec![0])), "no infrared");
    assert_eq!(listener.on_new_frame(FrameType::Depth, native_frame(1, 1, 1, vec![0])), "");
    assert_eq!(listener.on_new_frame(FrameType::Ir, native_frame(1, 1, 1, vec![0])), "no infrared");
}

#[test]
fn report_is_empty_on_success() {
    assert_eq!(report(Ok(())), "");
    assert_eq!(report(Err("failed".to_string())), "failed");
    assert_eq!(contain_panic(Ok(Ok(()))), Ok(()));
    assert_eq!(contain_panic(Ok(Err("failed".to_string()))), Err("failed".to_string()));
    assert_eq!(contain_panic(Err("panicked".to_string())), Err("panicked".to_string()));
    assert_eq!(report(contain_panic(Err("panicked".to_string()))), "panicked");
}

#[test]
fn frame_map_holds_one_frame_per_type() {
    let mut map: FrameMap<u32> = FrameMap::new();
    assert_eq!((map.color(), map.ir(), map.depth()), (None, None, None));
    map.insert(FrameType::Color, 1);
    map.insert(FrameType::Depth, 2);
    assert_eq!((map.color(), map.ir(), map.depth()), (Some(&1), None, Some(&2)));
    map.insert(FrameType::Color, 3);
    map.insert(FrameType::Ir, 4);
    assert_eq!((map.color(), map.ir(), map.depth()), (Some(&3), Some(&4), Some(&2)));
    map.set_color(5);
    map.set_ir(6);
    map.set_depth(7);
    assert_eq!((map.color(), map.ir(), map.depth()), (Some(&5), Some(&6), Some(&7)));
    assert_eq!(map.take_ir(), Some(6));
    assert_eq!(map.take_ir(), None);
    assert_eq!((map.color(), map.ir(), map.depth()), (Some(&5), None, Some(&7)));
    assert_eq!(map.take_color(), Some(5));
    assert_eq!(map.take_depth(), Some(7));
    assert_eq!((map.color(), map.ir(), map.depth()), (None, None, None));
    let fresh: FrameMap<u32> = FrameMap::default();
    assert_eq!((fresh.color(), fresh.ir(), fresh.depth()), (None, None, None));
}

#[test]
fn frame_map_expects_frames() {
    let mut map: FrameMap<u32> = FrameMap::new();
    assert_eq!(map.expect_color(), Err(NativeError::FrameNotFound(FrameType::Color)));
    assert_eq!(map.expect_ir(), Err(NativeError::FrameNotFound(FrameType::Ir)));
    assert_eq!(map.expect_depth(), Err(NativeError::FrameNotFound(FrameType::Depth)));
    assert_eq!(map.expect_take_color(), Err(NativeError::FrameNotFound(FrameType::Color)));
    assert_eq!(map.expect_take_ir(), Err(NativeError::FrameNotFound(FrameType::Ir)));
    assert_eq!(map.expect_take_depth(), Err(NativeError::FrameNotFound(FrameType::Depth)));
    map.insert(FrameType::Color, 1);
    map.insert(FrameType::Ir, 2);
    map.insert(FrameType::Depth, 3);
    assert_eq!(map.expect_color(), Ok(&1));
    assert_eq!(map.expect_ir(), Ok(&2));
    assert_eq!(map.expect_depth(), Ok(&3));
    assert_eq!(map.expect_take_color(), Ok(1));
    assert_eq!(map.expect_take_ir(), Ok(2));
    assert_eq!(map.expect_take_depth(), Ok(3));
    assert_eq!(map.expect_take_depth(), Err(NativeError::FrameNotFound(FrameType::Depth)));
    assert_eq!(map.expect_color(), Err(NativeError::FrameNotFound(FrameType::Color)));
}

#[test]
fn listener_needs_a_frame_type() {
    let listener = MultiFrameListener::<u32>::new(&[]);
    assert_eq!(listener.unwrap_err(), NativeError::InvalidConfig);
    assert_eq!(NativeError::InvalidConfig.kind(), ErrorKind::InvalidArgument);
    let listener = MultiFrameListener::<u32>::new(&[FrameType::Ir]).unwrap();
    assert!(listener.requires_type(FrameType::Ir));
    assert!(!listener.requires_type(FrameType::Color));
    assert!(!listener.requires_type(FrameType::Depth));
}

#[test]
fn color_alone_never_completes() {
    let mut listener = MultiFrameListener::new(&[FrameType::Color, FrameType::Depth]).unwrap();
    for i in 0..100u32 {
        assert!(!listener.on_new_frame(FrameType::Color, i));
        assert!(listener.get_frames().is_none());
    }
    for i in 0..100u32 {
        assert!(!listener.on_new_frame(FrameType::Ir, i));
    }
    assert!(listener.get_frames().is_none());
}

#[test]
fn color_then_depth_completes_once() {
    let mut listener = MultiFrameListener::new(&[FrameType::Color, FrameType::Depth]).unwrap();
    assert!(!listener.on_new_frame(FrameType::Color, 10u32));
    assert!(listener.on_new_frame(FrameType::Depth, 20u32));
    let frames = listener.get_frames().unwrap();
    assert_eq!((frames.color(), frames.ir(), frames.depth()), (Some(&10), None, Some(&20)));
    assert!(listener.get_frames().is_none());
    assert!(!listener.on_new_frame(FrameType::Depth, 30u32));
    assert!(listener.get_frames().is_none());
    assert!(listener.on_new_frame(FrameType::Color, 40u32));
    let frames = listener.get_frames().unwrap();
    assert_eq!((frames.color(), frames.depth()), (Some(&40), Some(&30)));
}

#[test]
fn newer_frame_replaces_pending_one() {
    let mut listener = MultiFrameListener::new(&[FrameType::Color, FrameType::Depth]).unwrap();
    assert!(!listener.on_new_frame(FrameType::Color, 1u32));
    assert!(!listener.on_new_frame(FrameType::Color, 2u32));
    assert!(!listener.on_new_frame(FrameType::Ir, 3u32));
    assert!(listener.on_new_frame(FrameType::Depth, 4u32));
    let frames = listener.get_frames().unwrap();
    assert_eq!((frames.color(), frames.ir(), frames.depth()), (Some(&2), Some(&3), Some(&4)));
}

#[test]
fn newer_set_replaces_waiting_one() {
    let mut listener = MultiFrameListener::new(&[FrameType::Depth]).unwrap();
    assert!(listener.on_new_frame(FrameType::Depth, 1u32));
    assert!(listener.on_new_frame(FrameType::Depth, 2u32));
    let frames = listener.get_frames().unwrap();
    assert_eq!(frames.depth(), Some(&2));
    assert!(listener.get_frames().is_none());
}

#[test]
fn timeout_without_frames() {
    let mut listener = MultiFrameListener::<u32>::new(&[FrameType::Color, FrameType::Depth]).unwrap();
    assert!(matches!(listener.get_frames_with_timeout(0, 10), Ok(None)));
    assert!(matches!(listener.get_frames_with_timeout(9, 10), Ok(None)));
    assert!(matches!(listener.get_frames_with_timeout(10, 10), Err(NativeError::Timeout)));
    assert!(matches!(listener.get_frames_with_timeout(11, 10), Err(NativeError::Timeout)));
    assert!(matches!(listener.get_frames_with_timeout(0, 0), Err(NativeError::Timeout)));
    assert_eq!(NativeError::Timeout.kind(), ErrorKind::Timeout);
    listener.on_new_frame(FrameType::Color, 1);
    assert!(matches!(listener.get_frames_with_timeout(10, 10), Err(NativeError::Timeout)));
    listener.on_new_frame(FrameType::Depth, 2);
    let frames = listener.get_frames_with_timeout(10, 10).unwrap().unwrap();
    assert_eq!((frames.color(), frames.depth()), (Some(&1), Some(&2)));
    assert!(matches!(listener.get_frames_with_timeout(10, 10), Err(NativeError::Timeout)));
}

#[test]
fn depth_frame_is_delivered_to_the_consumer() {
    let mut listener: MultiFrameListener<OwnedFrame> =
        MultiFrameListener::new(&[FrameType::Depth]).unwrap();
    let pattern: Vec<u8> = (0..512 * 424 * 4).map(|i| (i % 251) as u8).collect();
    {
        let delivered = Frame::new(
            512,
            424,
            4,
            &pattern,
            266,
            1,
            zero(),
            zero(),
            zero(),
            0,
            FrameFormat::Float,
        )
        .unwrap();
        assert!(listener.on_new_frame(FrameType::Depth, OwnedFrame::from(delivered)));
    }
    let frames = listener.get_frames_with_timeout(0, 1000).unwrap().unwrap();
    assert!(frames.color().is_none());
    assert!(frames.ir().is_none());
    let depth = frames.depth().unwrap();
    assert_eq!((depth.width(), depth.height(), depth.bytes_per_pixel()), (512, 424, 4));
    assert_eq!(depth.format(), FrameFormat::Float);
    assert_eq!(depth.raw_data(), &pattern[..]);
    assert_eq!(depth.timestamp(), 266);
}
