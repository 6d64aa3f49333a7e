use kwaymag::capture::{BufferData, DataType, ParamChange, VideoFormat, VideoInfo};
use kwaymag::main_loop::{LoopAction, MainLoop};
use kwaymag::state::CaptureState;

fn with_frame() -> CaptureState<i32> {
    let mut cap = CaptureState::new();
    let info = VideoInfo { format: VideoFormat::BGRx, width: 2, height: 2, modifier: 0 };
    cap.param_changed(ParamChange::Format(info));
    let data = BufferData { data_type: DataType::DmaBuf, offset: 0, size: 0, stride: 8 };
    cap.store_dmabuf(data, Some(3));
    cap
}

#[test]
fn a_turn_without_a_frame() {
    let mut cap: CaptureState<i32> = CaptureState::new();
    let mut turn = MainLoop::Top;
    assert_eq!(turn.next(true, &mut cap), LoopAction::Dispatch);
    assert_eq!(turn.next(true, &mut cap), LoopAction::Iterate);
    assert_eq!(turn.next(true, &mut cap), LoopAction::Flush);
    assert_eq!(turn.next(true, &mut cap), LoopAction::Wait { timeout_ms: 16 });
    assert_eq!(turn, MainLoop::Top);
    assert_eq!(cap, CaptureState::new());
}

#[test]
fn a_frame_is_drawn_once() {
    let mut cap = with_frame();
    let mut turn = MainLoop::Top;
    assert_eq!(turn.next(true, &mut cap), LoopAction::Dispatch);
    assert_eq!(turn.next(true, &mut cap), LoopAction::Iterate);
    assert!(cap.frame_ready);
    assert_eq!(turn.next(true, &mut cap), LoopAction::Render);
    assert!(!cap.frame_ready);
    assert!(cap.frame.is_some());
    assert_eq!(turn.next(true, &mut cap), LoopAction::Flush);
    assert_eq!(turn.next(true, &mut cap), LoopAction::Wait { timeout_ms: 16 });
    turn.next(true, &mut cap);
    turn.next(true, &mut cap);
    assert_eq!(turn.next(true, &mut cap), LoopAction::Flush);
}

#[test]
fn a_frame_that_is_ready_is_not_waited_for() {
    let mut cap = with_frame();
    let mut turn = MainLoop::Flushed;
    assert_eq!(turn.next(true, &mut cap), LoopAction::Dispatch);
    let mut turn = MainLoop::Flushed;
    assert_eq!(turn.next(false, &mut cap), LoopAction::Stop);
}

#[test]
fn a_turn_is_finished_before_the_loop_stops() {
    let mut cap: CaptureState<i32> = CaptureState::new();
    let mut turn = MainLoop::Top;
    assert_eq!(turn.next(true, &mut cap), LoopAction::Dispatch);
    assert_eq!(turn.next(false, &mut cap), LoopAction::Iterate);
    assert_eq!(turn.next(false, &mut cap), LoopAction::Flush);
    assert_eq!(turn.next(false, &mut cap), LoopAction::Wait { timeout_ms: 16 });
    assert_eq!(turn.next(false, &mut cap), LoopAction::Stop);
    assert_eq!(turn.next(false, &mut cap), LoopAction::Stop);
}
