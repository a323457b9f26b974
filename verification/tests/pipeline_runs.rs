use detect_pipeline::detections::{BoundingBox, Detection, Frame};
use detect_pipeline::pipeline::Pipeline;
use detect_pipeline::relay::ChannelClosed;
use detect_pipeline::worker::WorkerDecision;

fn frame() -> Frame {
    Frame { width: 640, height: 480 }
}

fn sample_detection(score_milli: u32) -> Detection {
    Detection {
        class_id: 0,
        score_milli,
        bbox: BoundingBox { x: 10, y: 20, width: 50, height: 60 },
    }
}

#[test]
fn empty_batch_yields_no_overlay_boxes() {
    let mut p = Pipeline::new();
    assert_eq!(p.control_tick(frame()), Ok(true));

    match p.worker_pull() {
        WorkerDecision::RunDetection(f) => assert_eq!(f, frame()),
        other => panic!("worker expected a frame, got {:?}", other),
    }
    assert!(p.worker_finish(Vec::new()));

    assert_eq!(p.control_tick(frame()), Ok(false));
    let latest = p.controller.latest.clone().unwrap();
    assert_eq!(latest.len(), 0);

    let labels = vec![b"person".to_vec()];
    let overlays = detect_pipeline::overlay::plan_overlays(&latest, &labels, 100, 500);
    assert_eq!(overlays.len(), 0);
}

#[test]
fn slow_detection_sends_one_frame_not_five() {
    let mut p = Pipeline::new();
    assert_eq!(p.control_tick(frame()), Ok(true));
    match p.worker_pull() {
        WorkerDecision::RunDetection(_) => {},
        other => panic!("worker expected a frame, got {:?}", other),
    }

    // five display intervals pass while the worker is still detecting:
    // the loop keeps presenting frames with the previous (absent) overlay
    // and sends nothing more
    for _ in 0..5 {
        assert_eq!(p.control_tick(frame()), Ok(false));
        assert!(p.controller.latest.is_none());
    }

    // the batch lands; the next iteration absorbs it but dispatches only
    // one iteration later
    let batch = vec![sample_detection(800)];
    assert!(p.worker_finish(batch.clone()));
    assert_eq!(p.control_tick(frame()), Ok(false));
    assert_eq!(p.controller.latest, Some(batch));
    assert_eq!(p.control_tick(frame()), Ok(true));
}

#[test]
fn batches_arrive_in_send_order() {
    let mut p = Pipeline::new();
    let first = vec![sample_detection(700)];
    let second = vec![sample_detection(900), sample_detection(300)];

    assert_eq!(p.control_tick(frame()), Ok(true));
    assert!(matches!(p.worker_pull(), WorkerDecision::RunDetection(_)));
    assert!(p.worker_finish(first.clone()));
    assert_eq!(p.control_tick(frame()), Ok(false));
    assert_eq!(p.controller.latest, Some(first));

    assert_eq!(p.control_tick(frame()), Ok(true));
    assert!(matches!(p.worker_pull(), WorkerDecision::RunDetection(_)));
    assert!(p.worker_finish(second.clone()));
    assert_eq!(p.control_tick(frame()), Ok(false));
    assert_eq!(p.controller.latest, Some(second));
}

#[test]
fn latest_is_replaced_never_cleared() {
    let mut p = Pipeline::new();
    let batch = vec![sample_detection(800)];

    assert_eq!(p.control_tick(frame()), Ok(true));
    assert!(matches!(p.worker_pull(), WorkerDecision::RunDetection(_)));
    assert!(p.worker_finish(batch.clone()));
    assert_eq!(p.control_tick(frame()), Ok(false));
    assert_eq!(p.controller.latest, Some(batch.clone()));

    // many result-less iterations later the overlay is stale but present
    for _ in 0..10 {
        let _ = p.control_tick(frame()).unwrap();
        assert_eq!(p.controller.latest, Some(batch.clone()));
    }
}

#[test]
fn dead_worker_leaves_display_loop_running() {
    let mut p = Pipeline::new();
    assert_eq!(p.control_tick(frame()), Ok(true));
    assert!(matches!(p.worker_pull(), WorkerDecision::RunDetection(_)));

    // the worker dies mid-detection: its side of the result relay is gone
    p.result_relay.close();
    assert!(!p.worker_finish(vec![sample_detection(800)]));

    // the display loop keeps presenting raw frames, no overlay, no crash
    for _ in 0..10 {
        assert_eq!(p.control_tick(frame()), Ok(false));
        assert!(p.controller.latest.is_none());
    }
}

#[test]
fn torn_down_frame_relay_fails_the_send() {
    let mut p = Pipeline::new();
    p.frame_relay.close();
    assert_eq!(p.control_tick(frame()), Err(ChannelClosed));
}

#[test]
fn worker_calibrates_from_first_pipeline_frame() {
    let mut p = Pipeline::new();
    assert_eq!(p.control_tick(Frame { width: 320, height: 240 }), Ok(true));
    assert!(matches!(p.worker_pull(), WorkerDecision::RunDetection(_)));
    let c = p.worker.calibration.unwrap();
    assert_eq!(c.input_width, 320);
    assert_eq!(c.input_height, 240);
}
