use roktrack::detection::{
    filter_class, AnimalClasses, Detection, FilterClass, RoktrackClasses, SessionType,
};
use roktrack::sort;

fn det(x1: u32, y1: u32, x2: u32, y2: u32, xc: u32, yc: u32, prob: u32, w: u32, h: u32) -> Detection {
    Detection { x1, y1, x2, y2, xc, yc, cls: 0, prob, w, h, ids: vec![] }
}

#[test]
fn sort_detection_test() {
    // center
    let d0 = det(155, 115, 165, 125, 160, 120, 950, 10, 10);
    // left top big
    let d1 = det(145, 100, 155, 115, 150, 107, 850, 10, 15);
    // right bottom small
    let d2 = det(165, 125, 175, 130, 170, 127, 750, 10, 5);
    let dets = vec![d0.clone(), d1.clone(), d2.clone()];
    let right = sort::right(dets.clone()).first().unwrap().clone();
    assert_eq!(right, d2.clone());
    let left = sort::left(dets.clone()).first().unwrap().clone();
    assert_eq!(left, d1.clone());
    let top = sort::top(dets.clone()).first().unwrap().clone();
    assert_eq!(top, d1.clone());
    let bottom = sort::bottom(dets.clone()).first().unwrap().clone();
    assert_eq!(bottom, d2.clone());
    let small = sort::small(dets.clone()).first().unwrap().clone();
    assert_eq!(small, d2.clone());
    let big: Detection = sort::big(dets.clone()).first().unwrap().clone();
    assert_eq!(big, d1.clone());
}

#[test]
fn sort_is_stable_and_complete() {
    let a = det(0, 0, 0, 0, 10, 0, 1, 0, 5);
    let b = det(1, 0, 0, 0, 30, 0, 2, 0, 5);
    let c = det(2, 0, 0, 0, 20, 0, 3, 0, 9);
    let out = sort::small(vec![c.clone(), a.clone(), b.clone()]);
    assert_eq!(out, vec![a.clone(), b.clone(), c.clone()]);
    let out = sort::big(vec![a.clone(), b.clone(), c.clone()]);
    assert_eq!(out, vec![c.clone(), a.clone(), b.clone()]);
    let out = sort::right(vec![a.clone(), b.clone(), c.clone()]);
    assert_eq!(out, vec![b.clone(), c.clone(), a.clone()]);
    assert!(sort::left(vec![]).is_empty());
}

#[test]
fn filters_and_classes() {
    let mut p = det(0, 0, 0, 0, 1, 0, 0, 0, 1);
    p.cls = 1;
    let m = det(0, 0, 0, 0, 2, 0, 0, 0, 1);
    let out = filter_class(vec![m.clone(), p.clone(), m.clone()], 1);
    assert_eq!(out, vec![p.clone()]);
    let out = RoktrackClasses::filter(vec![m.clone(), p.clone(), m.clone()], 0);
    assert_eq!(out.len(), 2);
    assert_eq!(AnimalClasses::filter(vec![p.clone()], 0).len(), 0);
    assert_eq!(RoktrackClasses::from_u32(2), Some(RoktrackClasses::ROKTRACK));
    assert_eq!(RoktrackClasses::from_u32(3), None);
    assert_eq!(RoktrackClasses::PERSON.to_u32(), 1);
    assert_eq!(AnimalClasses::from_u32(11), Some(AnimalClasses::SQUIRREL));
    assert_eq!(AnimalClasses::from_u32(12), None);
    assert_eq!(AnimalClasses::MONKEY.to_u32(), 2);
    assert_eq!(SessionType::Sz640.get_imgsz(), 640);
    assert_eq!(SessionType::Ocr.get_imgsz(), 96);
    let blank = Detection::new();
    assert_eq!(blank.h, 0);
    assert!(blank.ids.is_empty());
}

#[test]
fn overlapping_boxes_merge() {
    let mut a = det(0, 0, 100, 100, 50, 50, 900, 100, 100);
    a.ids = vec![1];
    let b = det(5, 5, 100, 100, 52, 52, 800, 95, 95);
    let mut c = det(0, 0, 100, 100, 50, 50, 700, 100, 100);
    c.cls = 1;
    let d = det(200, 200, 210, 210, 205, 205, 600, 10, 10);
    // A small overlap is no merge: 81 / 140 < 0.7.
    let e = det(0, 0, 10, 10, 5, 5, 500, 10, 10);
    let f = det(1, 1, 10, 10, 5, 5, 400, 9, 9);
    let out = roktrack::merge::merge_bboxes(vec![a.clone(), b, c.clone(), d.clone(), e.clone(), f.clone()]);
    assert_eq!(out.len(), 5);
    assert_eq!((out[0].x1, out[0].y1, out[0].x2, out[0].y2), (0, 0, 100, 100));
    assert_eq!((out[0].xc, out[0].yc, out[0].w, out[0].h), (50, 50, 100, 100));
    assert_eq!(out[0].prob, 900);
    assert!(out[0].ids.is_empty());
    assert_eq!(out[1], c);
    assert_eq!(out[2], d);
    assert_eq!(out[3], e);
    assert_eq!(out[4], f);
    assert!(roktrack::merge::merge_bboxes(vec![]).is_empty());
}
