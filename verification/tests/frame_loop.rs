use poisson_webcam::dispatch::DispatchSize;
use poisson_webcam::draw::DrawCall;
use poisson_webcam::frame::{
    first_word, read_points_length, FrameAction, FrameEvent, FrameLoop, ReadbackError,
    ReadbackPhase, WindowEvent,
};

const REDRAW: FrameEvent = FrameEvent::Window(WindowEvent::RedrawRequested);

fn computes(d: DispatchSize) -> Vec<FrameAction> {
    vec![FrameAction::CopyWebcamFrame, FrameAction::DispatchRadii(d), FrameAction::RunSampler]
}

#[test]
fn first_redraw_starts_readback() {
    let mut l = FrameLoop::new([640, 480]);
    assert!(!l.readback_pending());
    assert_eq!(l.dims(), [640, 480]);
    let acts = l.handle(REDRAW);
    let mut expected = computes(DispatchSize { x: 4800, y: 1, z: 1 });
    expected.push(FrameAction::BeginPointsLengthReadback);
    assert_eq!(acts, expected);
    assert!(l.readback_pending());
    assert_eq!(l.phase(), ReadbackPhase::AwaitingCount);
}

#[test]
fn redraw_while_waiting_only_samples() {
    let mut l = FrameLoop::new([640, 480]);
    l.handle(REDRAW);
    let acts = l.handle(REDRAW);
    assert_eq!(acts, computes(DispatchSize { x: 4800, y: 1, z: 1 }));
    assert!(l.readback_pending());
}

#[test]
fn point_count_presents_and_requests_redraw() {
    let mut l = FrameLoop::new([8, 8]);
    l.handle(REDRAW);
    let acts = l.handle(FrameEvent::PointsLengthRead(7));
    assert_eq!(
        acts,
        vec![
            FrameAction::Unmap,
            FrameAction::SubmitEmpty,
            FrameAction::DrawPoints(DrawCall { first_vertex: 0, vertex_end: 21, first_instance: 0, instance_end: 1 }),
            FrameAction::SubmitFrame,
            FrameAction::Present,
        ]
    );
    // still in flight until the frame is known to be presented
    assert!(l.readback_pending());
    assert_eq!(l.phase(), ReadbackPhase::Presenting);
    assert_eq!(l.handle(FrameEvent::FramePresented), vec![FrameAction::RequestRedraw]);
    assert!(!l.readback_pending());
    assert_eq!(l.phase(), ReadbackPhase::Idle);
}

#[test]
fn unpresented_frame_blocks_further_readbacks() {
    let mut l = FrameLoop::new([8, 8]);
    l.handle(REDRAW);
    l.handle(FrameEvent::PointsLengthRead(4));
    for _ in 0..3 {
        let acts = l.handle(REDRAW);
        assert!(!acts.contains(&FrameAction::BeginPointsLengthReadback));
        assert_eq!(l.handle(FrameEvent::PointsLengthRead(9)), vec![]);
    }
    assert_eq!(l.phase(), ReadbackPhase::Presenting);
}

#[test]
fn presented_without_readback_is_ignored() {
    let mut l = FrameLoop::new([8, 8]);
    assert_eq!(l.handle(FrameEvent::FramePresented), vec![]);
    l.handle(REDRAW);
    assert_eq!(l.handle(FrameEvent::FramePresented), vec![]);
    assert_eq!(l.phase(), ReadbackPhase::AwaitingCount);
}

#[test]
fn point_count_without_readback_is_ignored() {
    let mut l = FrameLoop::new([8, 8]);
    assert_eq!(l.handle(FrameEvent::PointsLengthRead(3)), vec![]);
    assert!(!l.readback_pending());
}

#[test]
fn close_exits_and_other_events_do_nothing() {
    let mut l = FrameLoop::new([8, 8]);
    assert_eq!(l.handle(FrameEvent::Window(WindowEvent::CloseRequested)), vec![FrameAction::Exit]);
    assert_eq!(l.handle(FrameEvent::Window(WindowEvent::Other)), vec![]);
    l.handle(REDRAW);
    assert_eq!(l.handle(FrameEvent::Window(WindowEvent::CloseRequested)), vec![FrameAction::Exit]);
    assert!(l.readback_pending());
}

#[test]
fn readbacks_never_overlap_over_a_run() {
    let mut l = FrameLoop::new([32, 32]);
    let events = [
        REDRAW, REDRAW, FrameEvent::Window(WindowEvent::Other), REDRAW,
        FrameEvent::PointsLengthRead(10), FrameEvent::PointsLengthRead(11), REDRAW,
        FrameEvent::FramePresented, FrameEvent::FramePresented, REDRAW,
        FrameEvent::PointsLengthRead(12), REDRAW, REDRAW,
    ];
    let (mut begun, mut presented, mut finished) = (0, 0, 0);
    for e in events {
        for a in l.handle(e) {
            match a {
                FrameAction::BeginPointsLengthReadback => begun += 1,
                FrameAction::Present => presented += 1,
                FrameAction::RequestRedraw => finished += 1,
                _ => {}
            }
        }
        assert!(finished <= presented && presented <= begun && begun <= finished + 1);
        assert_eq!(l.readback_pending(), begun == finished + 1);
    }
    assert_eq!((begun, presented, finished), (2, 2, 1));
}

#[test]
fn reads_point_count_from_mapped_bytes() {
    let words: Vec<u32> = vec![42, 7];
    let bytes: &[u8] = bytemuck::cast_slice(&words);
    assert_eq!(read_points_length(bytes), Ok(42));
    let one: Vec<u32> = vec![0x0102_0304];
    assert_eq!(read_points_length(bytemuck::cast_slice(&one)), Ok(0x0102_0304));
}

#[test]
fn rejects_partial_or_empty_words() {
    let words: Vec<u32> = vec![42, 7];
    let bytes: &[u8] = bytemuck::cast_slice(&words);
    assert_eq!(read_points_length(&bytes[..3]), Err(ReadbackError::Unreadable));
    assert_eq!(read_points_length(&bytes[..5]), Err(ReadbackError::Unreadable));
    assert!(read_points_length(&bytes[..0]).is_err());
}

#[test]
fn first_word_picks_the_count() {
    assert_eq!(first_word(&[9, 1, 2]), Ok(9));
    assert_eq!(first_word(&[0]), Ok(0));
    assert_eq!(first_word(&[]), Err(ReadbackError::Empty));
}
