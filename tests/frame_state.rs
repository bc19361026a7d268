use frame_pipeline::frame::FrameData;

#[test]
fn new_frame_is_empty() {
    let f = FrameData::new();
    assert!(f.get_ref(0).is_none());
    assert_eq!(f.get(0), None);
    assert_eq!(f.get_error(), None);
}

#[test]
fn push_then_read_and_pull() {
    let mut f = FrameData::new();
    assert_eq!(f.push(3, vec![1, 2, 3]), None);
    assert_eq!(f.get_ref(3), Some(&vec![1, 2, 3]));
    assert_eq!(f.pull(3), Some(vec![1, 2, 3]));
    assert!(f.get_ref(3).is_none());
}

#[test]
fn pull_of_absent_key_is_none() {
    let mut f = FrameData::new();
    f.push(1, vec![9]);
    assert_eq!(f.pull(2), None);
    assert_eq!(f.get_ref(1), Some(&vec![9]));
}

#[test]
fn push_over_held_key_replaces_it() {
    let mut f = FrameData::new();
    f.push(5, vec![1]);
    assert_eq!(f.push(5, vec![2, 2]), Some(vec![1]));
    assert_eq!(f.get_ref(5), Some(&vec![2, 2]));
    assert_eq!(f.pull(5), Some(vec![2, 2]));
    assert_eq!(f.pull(5), None);
}

#[test]
fn get_mut_ref_changes_in_place() {
    let mut f = FrameData::new();
    f.push(0, vec![0, 0]);
    f.push(1, vec![7]);
    if let Some(b) = f.get_mut_ref(0) {
        b[1] = 42;
        b.push(5);
    }
    assert_eq!(f.get_ref(0), Some(&vec![0, 42, 5]));
    assert_eq!(f.get_ref(1), Some(&vec![7]));
    assert!(f.get_mut_ref(9).is_none());
}

#[test]
fn statistics_keep_last_write() {
    let mut f = FrameData::new();
    f.set(2, 100);
    f.set(3, 7);
    f.set(2, 250);
    assert_eq!(f.get(2), Some(250));
    assert_eq!(f.get(3), Some(7));
    assert_eq!(f.get(4), None);
}

#[test]
fn error_report_keeps_last() {
    let mut f = FrameData::new();
    f.report_error(1);
    f.report_error(0);
    assert_eq!(f.get_error(), Some(0));
}

#[test]
fn many_keys_stay_apart() {
    let mut f = FrameData::new();
    for k in 0..20u64 {
        f.push(k, vec![k as u8]);
    }
    for k in (0..20u64).step_by(2) {
        assert_eq!(f.pull(k), Some(vec![k as u8]));
    }
    for k in 0..20u64 {
        let expected = if k % 2 == 0 { None } else { Some(vec![k as u8]) };
        assert_eq!(f.get_ref(k).cloned(), expected);
    }
}
