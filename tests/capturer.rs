use scrap_android::capturer::{Capturer, FrameError, FrameStep, PixelBuffer, Pixfmt, RotateCall};
use scrap_android::rotation::RotationMode;
use scrap_android::screen::{Display, ScreenSizeCache};

fn capturer(w: u16, h: u16) -> Capturer {
    let mut cache = ScreenSizeCache::new();
    let answer = format!(r#"{{"width":{},"height":{},"scale":1}}"#, w, h);
    Capturer::new(Display::primary(&mut cache, Some(&answer)))
}

fn rotation(deg: i64) -> String {
    format!(r#"{{"rotation":{}}}"#, deg)
}

#[test]
fn no_new_frame_would_block_and_changes_nothing() {
    let mut cap = capturer(2, 3);
    let raw: Vec<u8> = (0..24).collect();
    assert_eq!(cap.frame(Some(raw.clone()), Some(&rotation(0))), Ok(FrameStep::Ready));
    for _ in 0..2 {
        assert_eq!(cap.frame(None, Some(&rotation(90))), Err(FrameError::WouldBlock));
        assert_eq!(cap.output_buffer(), &raw[..]);
        assert_eq!(cap.previous_snapshot(), &raw[..]);
    }
}

#[test]
fn unrotated_frame_is_ready_without_copy() {
    let mut cap = capturer(2, 3);
    let raw: Vec<u8> = (0..24).collect();
    assert_eq!(cap.frame(Some(raw.clone()), Some(&rotation(360))), Ok(FrameStep::Ready));
    assert_eq!(cap.take_scratch(), Vec::<u8>::new());
    let pb = cap.pixel_buffer();
    assert_eq!((pb.width(), pb.height()), (2, 3));
    assert_eq!(pb.stride(), vec![8]);
    assert_eq!(pb.data(), &raw[..]);
    assert_eq!(pb.pixfmt(), Pixfmt::RGBA);
}

#[test]
fn quarter_turns_swap_source_dimensions() {
    for deg in [90, 270] {
        let mut cap = capturer(2, 3);
        let step = cap.frame(Some(vec![7u8; 24]), Some(&rotation(deg))).unwrap();
        let mode = RotationMode::from_degrees(deg as u16);
        assert_eq!(
            step,
            FrameStep::Rotate(RotateCall {
                src_width: 3,
                src_height: 2,
                src_stride: 12,
                dst_stride: 8,
                mode,
            })
        );
    }
    let mut cap = capturer(2, 3);
    let step = cap.frame(Some(vec![7u8; 24]), Some(&rotation(180))).unwrap();
    assert_eq!(
        step,
        FrameStep::Rotate(RotateCall {
            src_width: 2,
            src_height: 3,
            src_stride: 8,
            dst_stride: 8,
            mode: RotationMode::Rotate180,
        })
    );
}

#[test]
fn rotated_frame_keeps_logical_dimensions() {
    for deg in [0i64, 90, 180, 270] {
        let mut cap = capturer(4, 2);
        let raw: Vec<u8> = (0..32).collect();
        if let FrameStep::Rotate(_) = cap.frame(Some(raw), Some(&rotation(deg))).unwrap() {
            let mut scratch = cap.take_scratch();
            assert_eq!(scratch.len(), 32);
            scratch[0] = 99;
            assert_eq!(cap.finish_rotation(scratch), Ok(()));
            assert_eq!(cap.output_buffer()[0], 99);
        }
        let pb = cap.pixel_buffer();
        assert_eq!((pb.width(), pb.height()), (4, 2));
        assert_eq!(pb.stride(), vec![16]);
    }
}

#[test]
fn rotating_twice_round_trips_dimensions() {
    for (first, second) in [(90i64, 270i64), (180, 180)] {
        let mut cap = capturer(4, 2);
        let call = match cap.frame(Some(vec![1u8; 32]), Some(&rotation(first))).unwrap() {
            FrameStep::Rotate(call) => call,
            FrameStep::Ready => panic!("expected a rotation"),
        };
        let rotated = cap.take_scratch();
        cap.finish_rotation(rotated).unwrap();
        let current = cap.output_buffer().to_vec();
        let again = match cap.frame(Some(current), Some(&rotation(second))).unwrap() {
            FrameStep::Rotate(call) => call,
            FrameStep::Ready => panic!("expected a rotation"),
        };
        assert_eq!((call.src_width * call.src_height), (again.src_width * again.src_height));
        let rotated = cap.take_scratch();
        cap.finish_rotation(rotated).unwrap();
        let pb = cap.pixel_buffer();
        assert_eq!((pb.width(), pb.height()), (4, 2));
    }
}

#[test]
fn wrong_sized_rotation_is_refused() {
    let mut cap = capturer(2, 2);
    let raw: Vec<u8> = vec![5u8; 16];
    cap.frame(Some(raw.clone()), Some(&rotation(90))).unwrap();
    assert_eq!(cap.finish_rotation(vec![0u8; 15]), Err(FrameError::InvalidBufferSize));
    assert_eq!(cap.output_buffer(), &raw[..]);
}

#[test]
fn new_capturer_state() {
    let cap = capturer(640, 480);
    assert_eq!((cap.width(), cap.height()), (640, 480));
    assert!(cap.output_buffer().is_empty());
    assert!(cap.previous_snapshot().is_empty());
}

#[test]
fn pixel_buffer_stride() {
    let data = [0u8; 30];
    let pb = PixelBuffer::new(&data, 2, 3);
    assert_eq!(pb.stride(), vec![10]);
    assert_eq!((pb.width(), pb.height()), (2, 3));
}
