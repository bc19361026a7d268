use frame_pipeline::frame::FrameData;
use frame_pipeline::stats::StatsAggregator;

fn frame_with(key: u64, value: u128) -> FrameData {
    let mut f = FrameData::new();
    f.set(key, value);
    f
}

#[test]
fn aggregator_starts_empty() {
    let agg = StatsAggregator::new(3);
    assert_eq!(agg.count(), 0);
    assert_eq!(agg.total(), 0);
    assert_eq!(agg.mean(), None);
}

#[test]
fn aggregator_gathers_mean() {
    let mut agg = StatsAggregator::new(3);
    assert!(agg.add(&frame_with(3, 10)));
    assert!(agg.add(&frame_with(3, 25)));
    assert!(!agg.add(&frame_with(4, 1000)));
    assert!(agg.add(&frame_with(3, 4)));
    assert_eq!(agg.count(), 3);
    assert_eq!(agg.total(), 39);
    assert_eq!(agg.mean(), Some(13));
}

#[test]
fn aggregator_refuses_overflowing_total() {
    let mut agg = StatsAggregator::new(1);
    assert!(agg.add(&frame_with(1, u128::MAX - 1)));
    assert!(!agg.add(&frame_with(1, 2)));
    assert!(agg.add(&frame_with(1, 1)));
    assert_eq!(agg.total(), u128::MAX);
    assert_eq!(agg.count(), 2);
}
