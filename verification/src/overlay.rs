//! Turning the latest detection batch into drawable overlays.
//!
//! A stateless transformation: the surviving boxes after suppression,
//! each paired with its class label and the spot where the label text
//! is drawn, a fixed offset up and left of the box corner.

use vstd::prelude::*;

use crate::detections::{BoundingBox, Detection};
use crate::suppress::{suppress, suppression_spec};

verus! {

/// How far, in pixels, the label text sits up and left of its box corner.
pub const LABEL_OFFSET: i32 = 10;

/// One drawable overlay: a surviving box, its class label, and where the
/// label text goes.
#[derive(Clone, Debug, PartialEq, Eq)]
pub struct OverlayBox {
    pub bbox: BoundingBox,
    pub label: Vec<u8>,
    pub text_x: i32,
    pub text_y: i32,
}

fn copy_bytes(src: &Vec<u8>) -> (r: Vec<u8>)
    ensures
        r@ == src@,
{
    let mut r: Vec<u8> = Vec::new();
    let mut i: usize = 0;
    while i < src.len()
        invariant
            i <= src@.len(),
            r@ == src@.take(i as int),
        decreases src@.len() - i,
    {
        r.push(src[i]);
        proof {
            assert(src@.take(i as int + 1) =~= src@.take(i as int).push(src@[i as int]));
        }
        i += 1;
    }
    proof {
        assert(src@.take(src@.len() as int) =~= src@);
    }
    r
}

/// The overlays to draw for one batch: one per surviving detection, in
/// suppression order (best first), each carrying the box, the label text
/// of its class, and the label's anchor point.
pub fn plan_overlays(
    dets: &Vec<Detection>,
    labels: &Vec<Vec<u8>>,
    score_milli: u32,
    nms_milli: u32,
) -> (r: Vec<OverlayBox>)
    requires
        forall|i: int| 0 <= i < dets@.len() ==> (#[trigger] dets@[i]).class_id < labels@.len(),
        forall|i: int| 0 <= i < dets@.len() ==> (#[trigger] dets@[i]).bbox.x
            >= i32::MIN + LABEL_OFFSET && dets@[i].bbox.y >= i32::MIN + LABEL_OFFSET,
    ensures
        ({
            let kept = suppression_spec(dets@, score_milli, nms_milli);
            &&& r@.len() == kept.len()
            &&& forall|k: int|
                0 <= k < kept.len() ==> {
                    let d = dets@[kept[k] as int];
                    &&& (#[trigger] r@[k]).bbox == d.bbox
                    &&& r@[k].label@ == labels@[d.class_id as int]@
                    &&& r@[k].text_x == d.bbox.x - LABEL_OFFSET
                    &&& r@[k].text_y == d.bbox.y - LABEL_OFFSET
                }
        }),
{
    let kept = suppress(dets, score_milli, nms_milli);
    let mut r: Vec<OverlayBox> = Vec::new();
    let mut k: usize = 0;
    while k < kept.len()
        invariant
            k <= kept@.len(),
            kept@ == suppression_spec(dets@, score_milli, nms_milli),
            forall|j: int| 0 <= j < kept@.len() ==> kept@[j] < dets@.len(),
            forall|i: int| 0 <= i < dets@.len() ==> (#[trigger] dets@[i]).class_id
                < labels@.len(),
            forall|i: int| 0 <= i < dets@.len() ==> (#[trigger] dets@[i]).bbox.x
                >= i32::MIN + LABEL_OFFSET && dets@[i].bbox.y >= i32::MIN + LABEL_OFFSET,
            r@.len() == k,
            forall|j: int|
                0 <= j < k ==> {
                    let d = dets@[kept@[j] as int];
                    &&& (#[trigger] r@[j]).bbox == d.bbox
                    &&& r@[j].label@ == labels@[d.class_id as int]@
                    &&& r@[j].text_x == d.bbox.x - LABEL_OFFSET
                    &&& r@[j].text_y == d.bbox.y - LABEL_OFFSET
                },
        decreases kept@.len() - k,
    {
        let i = kept[k];
        let bbox = dets[i].bbox;
        let class_id = dets[i].class_id;
        let label = copy_bytes(&labels[class_id]);
        r.push(
            OverlayBox {
                bbox,
                label,
                text_x: bbox.x - LABEL_OFFSET,
                text_y: bbox.y - LABEL_OFFSET,
            },
        );
        k += 1;
    }
    r
}

} // verus!
