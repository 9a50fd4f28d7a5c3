use resources::cpu::{
    cpu_refresh_texts, percentage_text, temperature_text, thread_label, topology_texts,
    usage_fraction, CpuInfo, CpuSampler, RawCounterSample, UsageFraction,
};
use resources::settings::TemperatureUnit;

fn sample(idle: u64, total: u64) -> RawCounterSample {
    RawCounterSample::new(idle, total)
}

#[test]
fn fraction_of_ordinary_advance() {
    let f = usage_fraction(sample(100, 200), sample(150, 400));
    assert_eq!(f, UsageFraction { work: 150, total: 200 });
    assert_eq!(f.permyriad(), 7500);
    assert_eq!(f.percent_rounded(), 75);
}

#[test]
fn fraction_is_zero_when_no_time_elapsed() {
    let f = usage_fraction(sample(100, 200), sample(120, 200));
    assert_eq!(f, UsageFraction { work: 0, total: 0 });
    assert_eq!(f.permyriad(), 0);
    assert_eq!(f.percent_rounded(), 0);
}

#[test]
fn fraction_tolerates_full_counter_reset() {
    let f = usage_fraction(sample(500, 1000), sample(100, 200));
    assert_eq!(f, UsageFraction { work: 0, total: 0 });
    assert_eq!(f.percent_rounded(), 0);
}

#[test]
fn fraction_tolerates_idle_regression_alone() {
    let f = usage_fraction(sample(500, 1000), sample(100, 2000));
    assert_eq!(f, UsageFraction { work: 1000, total: 1000 });
    assert_eq!(f.permyriad(), 10000);
    assert_eq!(f.percent_rounded(), 100);
}

#[test]
fn fraction_stays_in_unit_interval_across_inputs() {
    let samples = [
        (sample(0, 0), sample(0, 0)),
        (sample(0, 0), sample(u64::MAX, u64::MAX)),
        (sample(u64::MAX, u64::MAX), sample(0, 0)),
        (sample(10, 5), sample(3, 100)),
        (sample(7, 7), sample(7, 8)),
    ];
    for (prev, cur) in samples {
        let f = usage_fraction(prev, cur);
        assert!(f.work <= f.total);
        assert!(f.percent_rounded() <= 100);
        assert!(f.permyriad() <= 10000);
    }
}

#[test]
fn single_core_sampler_never_populates_per_core_results() {
    let mut s = CpuSampler::new(1, Some(sample(0, 0)), vec![Some(sample(0, 0))]);
    let out = s.refresh(Some(sample(50, 100)), vec![Some(sample(50, 100))]);
    assert_eq!(out.total, UsageFraction { work: 50, total: 100 });
    assert!(out.threads.is_empty());
}

#[test]
fn multi_core_sampler_populates_one_result_per_core() {
    let baselines = vec![
        Some(sample(0, 0)),
        Some(sample(10, 10)),
        None,
        Some(sample(0, 100)),
    ];
    let mut s = CpuSampler::new(4, Some(sample(0, 0)), baselines);
    let fresh = vec![
        Some(sample(10, 100)),
        Some(sample(10, 110)),
        Some(sample(30, 60)),
        None,
    ];
    let out = s.refresh(Some(sample(100, 400)), fresh);
    assert_eq!(out.total, UsageFraction { work: 300, total: 400 });
    assert_eq!(out.threads.len(), 4);
    assert_eq!(out.threads[0], UsageFraction { work: 90, total: 100 });
    assert_eq!(out.threads[1], UsageFraction { work: 100, total: 100 });
    assert_eq!(out.threads[2], UsageFraction { work: 30, total: 60 });
    // the failed read degrades to a zeroed sample, regressing the counters
    assert_eq!(out.threads[3], UsageFraction { work: 0, total: 0 });
}

#[test]
fn sampler_uses_fresh_samples_as_next_baseline() {
    let mut s = CpuSampler::new(2, None, vec![None, None]);
    let first = s.refresh(
        Some(sample(50, 100)),
        vec![Some(sample(25, 50)), Some(sample(25, 50))],
    );
    assert_eq!(first.total, UsageFraction { work: 50, total: 100 });
    let second = s.refresh(
        Some(sample(50, 200)),
        vec![Some(sample(75, 100)), Some(sample(25, 150))],
    );
    // deltas are taken against the previous refresh, not the start
    assert_eq!(second.total, UsageFraction { work: 100, total: 100 });
    assert_eq!(second.threads[0], UsageFraction { work: 0, total: 50 });
    assert_eq!(second.threads[1], UsageFraction { work: 100, total: 100 });
}

#[test]
fn refresh_texts_pair_each_core_with_its_frequency() {
    let mut s = CpuSampler::new(2, None, vec![None, None]);
    let out = s.refresh(
        Some(sample(50, 100)),
        vec![Some(sample(25, 50)), Some(sample(40, 50))],
    );
    let freqs = vec![Some(4_200_000_000u64), None];
    let texts = cpu_refresh_texts(&out, &freqs, Some(4550), TemperatureUnit::Celsius);
    assert_eq!(texts.total_percentage, "50 %");
    assert_eq!(texts.thread_percentages, vec!["50 %", "20 %"]);
    assert_eq!(texts.thread_frequencies, vec!["4.20 GHz", "N/A"]);
    assert_eq!(texts.temperature, "46 °C");
}

#[test]
fn percentage_text_rounds_to_whole_percent() {
    assert_eq!(percentage_text(&UsageFraction { work: 150, total: 200 }), "75 %");
    assert_eq!(percentage_text(&UsageFraction { work: 0, total: 0 }), "0 %");
    assert_eq!(percentage_text(&UsageFraction { work: 1, total: 3 }), "33 %");
    assert_eq!(percentage_text(&UsageFraction { work: 2, total: 3 }), "67 %");
}

#[test]
fn temperature_text_shows_placeholder_without_sensor() {
    assert_eq!(temperature_text(None, TemperatureUnit::Celsius), "N/A");
    assert_eq!(temperature_text(Some(4500), TemperatureUnit::Celsius), "45 °C");
}

#[test]
fn thread_labels_count_from_one() {
    assert_eq!(thread_label(0), "CPU 1");
    assert_eq!(thread_label(11), "CPU 12");
}

#[test]
fn topology_texts_render_each_field_or_placeholder() {
    let info = CpuInfo {
        logical_cpus: Some(16),
        physical_cpus: Some(8),
        sockets: Some(1),
        max_speed: Some(5_700_000_000),
        virtualization: Some(String::from("KVM")),
        architecture: None,
    };
    let t = topology_texts(&info);
    assert_eq!(t.logical_cpus, "16");
    assert_eq!(t.physical_cpus, "8");
    assert_eq!(t.sockets, "1");
    assert_eq!(t.max_speed, "5.70 GHz");
    assert_eq!(t.virtualization, "KVM");
    assert_eq!(t.architecture, "N/A");
}

#[test]
fn topology_texts_of_failed_probe_are_all_placeholders() {
    let info = CpuInfo {
        logical_cpus: None,
        physical_cpus: None,
        sockets: None,
        max_speed: None,
        virtualization: None,
        architecture: None,
    };
    let t = topology_texts(&info);
    assert_eq!(t.logical_cpus, "N/A");
    assert_eq!(t.physical_cpus, "N/A");
    assert_eq!(t.sockets, "N/A");
    assert_eq!(t.max_speed, "N/A");
    assert_eq!(t.virtualization, "N/A");
    assert_eq!(t.architecture, "N/A");
}
