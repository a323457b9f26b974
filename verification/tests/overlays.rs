use detect_pipeline::detections::{BoundingBox, Detection};
use detect_pipeline::labels::parse_labels;
use detect_pipeline::overlay::plan_overlays;

#[test]
fn overlay_carries_box_label_and_text_anchor() {
    let dets = vec![Detection {
        class_id: 1,
        score_milli: 800,
        bbox: BoundingBox { x: 30, y: 40, width: 50, height: 60 },
    }];
    let labels = vec![b"person".to_vec(), b"car".to_vec()];
    let overlays = plan_overlays(&dets, &labels, 100, 500);
    assert_eq!(overlays.len(), 1);
    assert_eq!(overlays[0].bbox, dets[0].bbox);
    assert_eq!(overlays[0].label, b"car".to_vec());
    assert_eq!(overlays[0].text_x, 20);
    assert_eq!(overlays[0].text_y, 30);
}

#[test]
fn suppressed_boxes_are_not_drawn() {
    let strong = Detection {
        class_id: 0,
        score_milli: 900,
        bbox: BoundingBox { x: 0, y: 0, width: 100, height: 100 },
    };
    let weak = Detection {
        class_id: 0,
        score_milli: 400,
        bbox: BoundingBox { x: 0, y: 0, width: 100, height: 90 },
    };
    let labels = vec![b"person".to_vec()];
    let overlays = plan_overlays(&vec![strong, weak], &labels, 100, 500);
    assert_eq!(overlays.len(), 1);
    assert_eq!(overlays[0].bbox, strong.bbox);
}

#[test]
fn no_detections_no_overlays() {
    let labels = vec![b"person".to_vec()];
    let overlays = plan_overlays(&Vec::new(), &labels, 100, 500);
    assert!(overlays.is_empty());
}

#[test]
fn labels_split_on_line_feeds() {
    let data = b"person\nbicycle\ncar".to_vec();
    let labels = parse_labels(&data);
    assert_eq!(labels, vec![b"person".to_vec(), b"bicycle".to_vec(), b"car".to_vec()]);
}

#[test]
fn trailing_line_feed_gives_trailing_empty_label() {
    let data = b"person\ncar\n".to_vec();
    let labels = parse_labels(&data);
    assert_eq!(labels, vec![b"person".to_vec(), b"car".to_vec(), b"".to_vec()]);
}

#[test]
fn empty_resource_gives_one_empty_label() {
    let labels = parse_labels(&Vec::new());
    assert_eq!(labels, vec![b"".to_vec()]);
}

#[test]
fn consecutive_line_feeds_keep_the_empty_line() {
    let data = b"a\n\nb".to_vec();
    let labels = parse_labels(&data);
    assert_eq!(labels, vec![b"a".to_vec(), b"".to_vec(), b"b".to_vec()]);
}

#[test]
fn parsed_labels_feed_overlay_lookup() {
    let labels = parse_labels(&b"cat\ndog".to_vec());
    let dets = vec![Detection {
        class_id: 0,
        score_milli: 700,
        bbox: BoundingBox { x: 15, y: 25, width: 10, height: 10 },
    }];
    let overlays = plan_overlays(&dets, &labels, 100, 500);
    assert_eq!(overlays[0].label, b"cat".to_vec());
}
