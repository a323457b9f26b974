use detect_pipeline::detections::{BoundingBox, Detection};
use detect_pipeline::suppress::{overlaps_above, suppress};

fn det(class_id: usize, score_milli: u32, x: i32, y: i32, w: i32, h: i32) -> Detection {
    Detection { class_id, score_milli, bbox: BoundingBox { x, y, width: w, height: h } }
}

#[test]
fn overlap_ratio_is_compared_exactly() {
    // inter = 9000, union = 10000: ratio is exactly nine tenths
    let a = BoundingBox { x: 0, y: 0, width: 100, height: 100 };
    let b = BoundingBox { x: 0, y: 0, width: 100, height: 90 };
    assert!(overlaps_above(&a, &b, 899));
    assert!(!overlaps_above(&a, &b, 900));
}

#[test]
fn disjoint_boxes_never_overlap() {
    let a = BoundingBox { x: 0, y: 0, width: 10, height: 10 };
    let b = BoundingBox { x: 100, y: 100, width: 10, height: 10 };
    assert!(!overlaps_above(&a, &b, 0));
}

#[test]
fn two_overlapping_boxes_keep_only_the_better() {
    // overlap ratio 0.9, scores 0.9 and 0.4, score threshold 0.1,
    // suppression threshold 0.5: exactly the 0.9 box survives
    let strong = det(0, 900, 0, 0, 100, 100);
    let weak = det(0, 400, 0, 0, 100, 90);
    let dets = vec![strong, weak];
    assert_eq!(suppress(&dets, 100, 500), vec![0]);

    // the same regardless of input order
    let dets = vec![weak, strong];
    assert_eq!(suppress(&dets, 100, 500), vec![1]);
}

#[test]
fn empty_batch_keeps_nothing() {
    let dets: Vec<Detection> = Vec::new();
    assert_eq!(suppress(&dets, 100, 500), Vec::<usize>::new());
}

#[test]
fn score_at_threshold_is_filtered_out() {
    let dets = vec![det(0, 100, 0, 0, 10, 10)];
    assert_eq!(suppress(&dets, 100, 500), Vec::<usize>::new());
    assert_eq!(suppress(&dets, 99, 500), vec![0]);
}

#[test]
fn disjoint_boxes_all_survive_best_first() {
    let dets = vec![
        det(0, 300, 0, 0, 10, 10),
        det(1, 900, 100, 0, 10, 10),
        det(2, 600, 200, 0, 10, 10),
    ];
    assert_eq!(suppress(&dets, 100, 500), vec![1, 2, 0]);
}

#[test]
fn equal_scores_rank_by_position() {
    let dets = vec![det(0, 500, 0, 0, 10, 10), det(1, 500, 100, 0, 10, 10)];
    assert_eq!(suppress(&dets, 100, 500), vec![0, 1]);
}
