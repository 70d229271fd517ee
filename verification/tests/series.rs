use crossinfo::series::{axis_scale, MetricKey, Recorder, Sample, Series};

const SECOND: u64 = 1_000_000_000;

fn key(model: &str) -> MetricKey {
    MetricKey::new(model.to_string(), "maker".to_string())
}

#[test]
fn a_sample_too_soon_is_suppressed() {
    let mut recorder: Recorder<f64> = Recorder::new(SECOND);
    let cpu = key("cpu0");
    assert!(recorder.record(&cpu, 0, 10.0));
    assert!(!recorder.record(&cpu, SECOND / 2, 20.0));
    assert!(recorder.record(&cpu, SECOND + SECOND / 5, 30.0));
    let series = recorder.series(&cpu).unwrap();
    assert_eq!(
        series.samples(),
        &vec![
            Sample { elapsed: 0, value: 10.0 },
            Sample { elapsed: SECOND + SECOND / 5, value: 30.0 }
        ]
    );
}

#[test]
fn exactly_the_interval_is_too_soon() {
    let mut series: Series<u8> = Series::new();
    assert!(series.record(100, 1, 50));
    assert!(!series.record(150, 2, 50));
    assert!(series.record(151, 3, 50));
    assert!(!series.record(100, 4, 50));
    assert_eq!(series.len(), 2);
    assert_eq!(series.samples()[1], Sample { elapsed: 151, value: 3 });
}

#[test]
fn each_key_has_its_own_series() {
    let mut recorder: Recorder<u32> = Recorder::new(10);
    assert!(recorder.is_empty());
    assert!(recorder.record(&key("a"), 5, 1));
    assert!(recorder.record(&key("b"), 6, 2));
    assert!(!recorder.record(&key("a"), 15, 3));
    assert!(recorder.record(&key("b"), 17, 4));
    assert!(!recorder.is_empty());
    assert_eq!(recorder.keys().len(), 2);
    assert_eq!(recorder.series(&key("a")).unwrap().len(), 1);
    assert_eq!(recorder.series(&key("b")).unwrap().len(), 2);
    assert!(recorder.series(&key("c")).is_none());
}

#[test]
fn keys_differ_by_manufacturer_too() {
    let mut recorder: Recorder<u32> = Recorder::new(10);
    let one = MetricKey::new("cpu0".to_string(), "A".to_string());
    let other = MetricKey::new("cpu0".to_string(), "B".to_string());
    assert!(!one.same(&other));
    assert!(one.same(&one.clone()));
    assert!(recorder.record(&one, 0, 1));
    assert!(recorder.record(&other, 0, 2));
    assert_eq!(recorder.series(&other).unwrap().samples()[0].value, 2);
}

#[test]
fn axis_scale_divides_down_below_a_thousand() {
    assert_eq!(axis_scale(0), 0);
    assert_eq!(axis_scale(999), 999);
    assert_eq!(axis_scale(1000), 1);
    assert_eq!(axis_scale(1001), 1);
    assert_eq!(axis_scale(16_000_000_000), 16);
    assert_eq!(axis_scale(1_000_500), 1);
    assert_eq!(axis_scale(999_999), 999);
    assert_eq!(axis_scale(8_589_934_592), 8);
    assert_eq!(axis_scale(u64::MAX), 18);
}
