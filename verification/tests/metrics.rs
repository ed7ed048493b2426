use dim_stream_deck::metrics::{
    metric_image_file, metric_value, render_plan, Metric, MetricImage, Metrics, MetricsAction,
    MetricsSettings,
};

fn sample_metrics() -> Metrics {
    Metrics {
        vanguard: 1,
        gambit: 22,
        crucible: 333,
        trials: 4444,
        iron_banner: 55555,
        triumphs: 1234567,
        gunsmith: 0,
        battle_pass: 4294967295,
        artifact_icon: Some("/common/destiny2_content/icons/artifact.jpg".to_string()),
    }
}

fn label_of(value: u32) -> String {
    let mut m = sample_metrics();
    m.vanguard = value;
    render_plan(Metric::Vanguard, m).label
}

#[test]
fn metric_value_selects_each_counter() {
    let m = sample_metrics();
    assert_eq!(metric_value(Metric::Vanguard, &m), 1);
    assert_eq!(metric_value(Metric::Gambit, &m), 22);
    assert_eq!(metric_value(Metric::Crucible, &m), 333);
    assert_eq!(metric_value(Metric::Trials, &m), 4444);
    assert_eq!(metric_value(Metric::IronBanner, &m), 55555);
    assert_eq!(metric_value(Metric::Triumphs, &m), 1234567);
    assert_eq!(metric_value(Metric::Gunsmith, &m), 0);
    assert_eq!(metric_value(Metric::BattlePass, &m), 4294967295);
}

#[test]
fn labels_group_digits_by_three() {
    assert_eq!(label_of(0), "0");
    assert_eq!(label_of(7), "7");
    assert_eq!(label_of(999), "999");
    assert_eq!(label_of(1000), "1,000");
    assert_eq!(label_of(10000), "10,000");
    assert_eq!(label_of(100000), "100,000");
    assert_eq!(label_of(1234567), "1,234,567");
    assert_eq!(label_of(u32::MAX), "4,294,967,295");
}

#[test]
fn removing_separators_gives_back_the_number() {
    for value in [0u32, 5, 999, 1000, 1001, 65536, 1234567, u32::MAX] {
        let label = label_of(value);
        let digits: String = label.chars().filter(|c| *c != ',').collect();
        assert_eq!(digits, value.to_string());
    }
}

#[test]
fn image_files_are_named_after_the_metric() {
    assert_eq!(metric_image_file(Metric::Vanguard), "./images/metrics/Vanguard.png");
    assert_eq!(metric_image_file(Metric::Gambit), "./images/metrics/Gambit.png");
    assert_eq!(metric_image_file(Metric::Crucible), "./images/metrics/Crucible.png");
    assert_eq!(metric_image_file(Metric::Trials), "./images/metrics/Trials.png");
    assert_eq!(metric_image_file(Metric::IronBanner), "./images/metrics/IronBanner.png");
    assert_eq!(metric_image_file(Metric::Triumphs), "./images/metrics/Triumphs.png");
    assert_eq!(metric_image_file(Metric::Gunsmith), "./images/metrics/Gunsmith.png");
}

#[test]
fn battle_pass_uses_the_artifact_icon() {
    let plan = render_plan(Metric::BattlePass, sample_metrics());
    assert_eq!(plan.label, "4,294,967,295");
    match plan.image {
        MetricImage::Artifact(icon) => {
            assert_eq!(icon.as_deref(), Some("/common/destiny2_content/icons/artifact.jpg"))
        }
        MetricImage::File(_) => panic!("the battle pass is drawn over the artifact icon"),
    }
    let mut m = sample_metrics();
    m.artifact_icon = None;
    match render_plan(Metric::BattlePass, m).image {
        MetricImage::Artifact(icon) => assert!(icon.is_none()),
        MetricImage::File(_) => panic!("the battle pass is drawn over the artifact icon"),
    }
}

#[test]
fn other_metrics_use_their_bundled_image() {
    let plan = render_plan(Metric::IronBanner, sample_metrics());
    assert_eq!(plan.label, "55,555");
    match plan.image {
        MetricImage::File(path) => assert_eq!(path, "./images/metrics/IronBanner.png"),
        MetricImage::Artifact(_) => panic!("iron banner has a bundled image"),
    }
}

#[test]
fn update_needs_settings_metrics_and_a_metric() {
    let action = MetricsAction;
    let with_metric = || Some(MetricsSettings { metric: Some(Metric::Trials) });
    assert!(action.plan_update(None, Some(sample_metrics())).is_none());
    assert!(action.plan_update(with_metric(), None).is_none());
    assert!(action.plan_update(None, None).is_none());
    assert!(action
        .plan_update(Some(MetricsSettings { metric: None }), Some(sample_metrics()))
        .is_none());
    let plan = action.plan_update(with_metric(), Some(sample_metrics())).unwrap();
    assert_eq!(plan.label, "4,444");
    match plan.image {
        MetricImage::File(path) => assert_eq!(path, "./images/metrics/Trials.png"),
        MetricImage::Artifact(_) => panic!("trials has a bundled image"),
    }
}

#[test]
fn key_is_drawn_unless_the_artifact_icon_is_missing() {
    let file = render_plan(Metric::Gambit, sample_metrics());
    assert!(file.is_drawn(true));
    assert!(file.is_drawn(false));
    let artifact = render_plan(Metric::BattlePass, sample_metrics());
    assert!(artifact.is_drawn(true));
    assert!(!artifact.is_drawn(false));
}
