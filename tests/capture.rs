use libwayshot::dispatch::{CaptureFrameState, FrameEvent, FrameState};
use libwayshot::error::Error;
use libwayshot::dispatch::Transform;
use libwayshot::region::{LogicalRegion, Size};
use libwayshot::screencopy::{finish_capture, frame_to_image, normalize, FrameFormat, PixelFormat, Pixels};

fn buffer(format: PixelFormat, width: u32, height: u32, stride: u32) -> FrameEvent {
    FrameEvent::Buffer { format, width, height, stride }
}

fn full_hd(format: PixelFormat) -> FrameFormat {
    FrameFormat { format, size: Size { width: 1920, height: 1080 }, stride: 7680 }
}

#[test]
fn xrgb_full_hd_frame_converts_every_pixel() {
    let format = full_hd(PixelFormat::Xrgb8888);
    assert_eq!(format.byte_size(), 7680 * 1080);
    let data: Vec<u8> = [0x10u8, 0x20, 0x30, 0xFF].repeat(1920 * 1080);
    match normalize(format.format, &data) {
        Ok(Pixels::Rgba8(v)) => {
            assert_eq!(v.len(), data.len());
            for px in v.chunks_exact(4) {
                assert_eq!(px, [0x30, 0x20, 0x10, 0xFF]);
            }
        }
        other => panic!("unexpected result {:?}", other.map(|_| ())),
    }
    let image = frame_to_image(&format, &data).unwrap();
    assert_eq!(image.width(), 1920);
    assert_eq!(image.height(), 1080);
    assert_eq!(&image.as_bytes()[..8], &[0x30, 0x20, 0x10, 0xFF, 0x30, 0x20, 0x10, 0xFF]);
}

#[test]
fn image_holds_the_converted_pixels() {
    let format = FrameFormat { format: PixelFormat::Abgr8888, size: Size { width: 2, height: 1 }, stride: 8 };
    let image = frame_to_image(&format, &[1, 2, 3, 4, 5, 6, 7, 8]).unwrap();
    assert_eq!(image.as_bytes(), &[1, 2, 3, 4, 5, 6, 7, 8]);
    let swapped = FrameFormat { format: PixelFormat::Argb8888, size: Size { width: 2, height: 1 }, stride: 8 };
    let image = frame_to_image(&swapped, &[1, 2, 3, 4, 5, 6, 7, 8]).unwrap();
    assert_eq!(image.as_bytes(), &[3, 2, 1, 4, 7, 6, 5, 8]);
    let rgb = FrameFormat { format: PixelFormat::Bgr888, size: Size { width: 1, height: 1 }, stride: 4 };
    let image = frame_to_image(&rgb, &[1, 2, 3, 4]).unwrap();
    assert_eq!(image.as_bytes(), &[1, 2, 3, 4]);
    let deep = FrameFormat { format: PixelFormat::Xbgr2101010, size: Size { width: 1, height: 1 }, stride: 4 };
    let image = frame_to_image(&deep, &[0xFF, 0xFF, 0xFF, 0xFF]).unwrap();
    assert_eq!(image.as_bytes(), &[0x00, 0xC0, 0xC0, 0xFF, 0xC0, 0xFF, 0xC0, 0xFF]);
}

#[test]
fn unsupported_format_is_an_error() {
    let format = full_hd(PixelFormat::Other(0x3432_5258));
    assert_eq!(normalize(format.format, &[0; 8]).err(), Some(Error::NoSupportedBufferFormat));
    assert_eq!(frame_to_image(&format, &[0; 8]).err(), Some(Error::NoSupportedBufferFormat));
}

#[test]
fn short_buffer_is_too_small() {
    let format = FrameFormat { format: PixelFormat::Argb8888, size: Size { width: 2, height: 2 }, stride: 8 };
    assert_eq!(frame_to_image(&format, &[0; 12]).err(), Some(Error::BufferTooSmall));
    assert!(frame_to_image(&format, &[0; 16]).is_ok());
    assert_eq!(normalize(PixelFormat::Argb8888, &[0; 6]).err(), Some(Error::BufferTooSmall));
}

#[test]
fn byte_size_is_stride_times_height() {
    let format = FrameFormat { format: PixelFormat::Argb8888, size: Size { width: 3, height: 5 }, stride: 16 };
    assert_eq!(format.byte_size(), 80);
    let huge = FrameFormat { format: PixelFormat::Argb8888, size: Size { width: 1, height: u32::MAX }, stride: u32::MAX };
    assert_eq!(huge.byte_size(), u32::MAX as u64 * u32::MAX as u64);
}

#[test]
fn first_supported_format_is_chosen() {
    let mut session = CaptureFrameState::new();
    session.handle_event(buffer(PixelFormat::Other(7), 10, 10, 40));
    session.handle_event(buffer(PixelFormat::Xbgr8888, 10, 10, 40));
    session.handle_event(buffer(PixelFormat::Argb8888, 10, 10, 44));
    session.handle_event(FrameEvent::BufferDone);
    assert!(session.buffer_done);
    assert_eq!(session.formats.len(), 3);
    let chosen = session.select_format().unwrap();
    assert_eq!(chosen.format, PixelFormat::Xbgr8888);
    assert_eq!(chosen.stride, 40);
}

#[test]
fn no_supported_format_is_an_error() {
    let mut session = CaptureFrameState::new();
    assert_eq!(session.select_format().err(), Some(Error::NoSupportedBufferFormat));
    session.handle_event(buffer(PixelFormat::Other(1), 1, 1, 4));
    assert_eq!(session.select_format().err(), Some(Error::NoSupportedBufferFormat));
}

#[test]
fn failed_before_ready_is_rejected() {
    let mut session = CaptureFrameState::new();
    session.handle_event(buffer(PixelFormat::Xrgb8888, 4, 4, 16));
    session.handle_event(FrameEvent::BufferDone);
    assert_eq!(session.completion(), None);
    session.handle_event(FrameEvent::Failed);
    session.handle_event(FrameEvent::Ready);
    assert_eq!(session.state, Some(FrameState::Failed));
    assert_eq!(session.completion(), Some(Err(Error::CompositorRejected)));
    let format = session.select_format().unwrap();
    let map = memmap2::MmapMut::map_anon(format.byte_size() as usize).unwrap();
    let result = finish_capture(&session, format, map, Transform::Normal, LogicalRegion::zero(), Size::zero());
    assert_eq!(result.err(), Some(Error::CompositorRejected));
}

#[test]
fn ready_then_failed_stays_finished() {
    let mut session = CaptureFrameState::new();
    session.handle_event(FrameEvent::Ready);
    session.handle_event(FrameEvent::Failed);
    session.handle_event(FrameEvent::Other);
    assert_eq!(session.state, Some(FrameState::Finished));
    assert_eq!(session.completion(), Some(Ok(())));
}

#[test]
fn finished_capture_is_packaged() {
    let mut session = CaptureFrameState::new();
    session.handle_event(buffer(PixelFormat::Xbgr8888, 2, 1, 8));
    session.handle_event(FrameEvent::BufferDone);
    session.handle_event(FrameEvent::Ready);
    let format = session.select_format().unwrap();
    let mut map = memmap2::MmapMut::map_anon(8).unwrap();
    map.copy_from_slice(&[1, 2, 3, 4, 5, 6, 7, 8]);
    let copy = finish_capture(&session, format, map, Transform::Rotated90, LogicalRegion::zero(), Size { width: 2, height: 1 }).unwrap();
    assert_eq!(copy.frame_format, format);
    assert_eq!(copy.transform, Transform::Rotated90);
    assert_eq!(copy.physical_size, Size { width: 2, height: 1 });
    let image = copy.to_image().unwrap();
    assert_eq!(image.as_bytes(), &[1, 2, 3, 4, 5, 6, 7, 8]);
}

#[test]
fn sequential_captures_use_separate_memory() {
    let format = FrameFormat { format: PixelFormat::Argb8888, size: Size { width: 1, height: 1 }, stride: 4 };
    let mut first = CaptureFrameState::new();
    first.handle_event(FrameEvent::Ready);
    let mut map = memmap2::MmapMut::map_anon(4).unwrap();
    map.copy_from_slice(&[1, 2, 3, 4]);
    let first_copy = finish_capture(&first, format, map, Transform::Normal, LogicalRegion::zero(), Size::zero()).unwrap();
    let first_image = first_copy.to_image().unwrap();
    drop(first_copy);

    let mut second = CaptureFrameState::new();
    assert_eq!(second.state, None);
    second.handle_event(FrameEvent::Ready);
    let mut map = memmap2::MmapMut::map_anon(4).unwrap();
    map.copy_from_slice(&[5, 6, 7, 8]);
    let second_copy = finish_capture(&second, format, map, Transform::Normal, LogicalRegion::zero(), Size::zero()).unwrap();
    assert_eq!(first_image.as_bytes(), &[3, 2, 1, 4]);
    assert_eq!(second_copy.to_image().unwrap().as_bytes(), &[7, 6, 5, 8]);
}

#[test]
fn pool_size_must_fit_the_protocol() {
    let format = FrameFormat { format: PixelFormat::Argb8888, size: Size { width: 1920, height: 1080 }, stride: 7680 };
    assert_eq!(format.pool_size(), Some(7680 * 1080));
    let edge = FrameFormat { format: PixelFormat::Argb8888, size: Size { width: 1, height: 1 }, stride: i32::MAX as u32 };
    assert_eq!(edge.pool_size(), Some(i32::MAX));
    let big = FrameFormat { format: PixelFormat::Argb8888, size: Size { width: 65536, height: 16384 }, stride: 262144 };
    assert_eq!(big.pool_size(), None);
}
