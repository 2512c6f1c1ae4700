use rockey_hockey::preview::{PreviewFrames, PreviewStreamKind};

#[test]
fn empty_store_serves_nothing() {
    let frames = PreviewFrames::new();
    assert_eq!(frames.frame_count(), 0);
    assert!(frames.preview(PreviewStreamKind::Detection).is_none());
    assert!(!frames.has_fresh(PreviewStreamKind::Mask, 0));
    assert_eq!(frames.fresh_preview(PreviewStreamKind::Detection, 0), None);
}

#[test]
fn published_frame_is_served_once_per_reader() {
    let mut frames = PreviewFrames::new();
    frames.publish(vec![1, 2, 3], Some(vec![9]), None, None, Some(vec![7, 7]));
    assert_eq!(frames.frame_count(), 1);
    assert_eq!(
        frames.fresh_preview(PreviewStreamKind::Detection, 0),
        Some((1, vec![1, 2, 3]))
    );
    assert_eq!(frames.fresh_preview(PreviewStreamKind::Mask, 0), Some((1, vec![9])));
    assert_eq!(frames.fresh_preview(PreviewStreamKind::HMask, 0), None);
    assert_eq!(frames.fresh_preview(PreviewStreamKind::VMask, 0), Some((1, vec![7, 7])));
    assert_eq!(frames.fresh_preview(PreviewStreamKind::Detection, 1), None);
    assert!(frames.has_fresh(PreviewStreamKind::SMask, 0) == false);

    frames.publish(vec![4], None, Some(vec![5]), None, None);
    assert_eq!(frames.fresh_preview(PreviewStreamKind::Detection, 1), Some((2, vec![4])));
    assert_eq!(frames.fresh_preview(PreviewStreamKind::Mask, 1), None);
    assert_eq!(frames.preview(PreviewStreamKind::HMask), Some(&vec![5]));
}
