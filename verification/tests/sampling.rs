use rndiag::engine::{loss_share, rebuild, summarize_raw, SamplingEngine, Statistics};
use rndiag::sampling::{clamp_latency, select_scale, PreAggregate, RawSample};
use rndiag::series::{packet_latency, packet_received, SampledPoint};

fn engine_with(latencies: &[u64], step: u64) -> SamplingEngine {
    let mut engine = SamplingEngine::new();
    let mut time: u64 = 1_000;
    for latency in latencies {
        assert!(engine.can_record(time));
        engine.observe(*latency, time);
        time += step;
    }
    engine
}

#[test]
fn batch_of_five_gives_one_pre_aggregate() {
    let engine = engine_with(&[10, 20, 15, 30, 25], 1);
    assert_eq!(
        engine.pre_aggregates(),
        &vec![PreAggregate { min_ms: 10, avg_ms: 20, max_ms: 30, window_start_time: 1_000 }]
    );
}

#[test]
fn pre_aggregate_average_is_truncated() {
    let engine = engine_with(&[1, 2, 2, 2, 2], 1);
    assert_eq!(engine.pre_aggregates()[0].avg_ms, 1);
    assert_eq!(engine.pre_aggregates()[0].min_ms, 1);
    assert_eq!(engine.pre_aggregates()[0].max_ms, 2);
}

#[test]
fn pre_aggregate_count_is_a_fifth_of_the_samples() {
    for n in 0..23usize {
        let latencies: Vec<u64> = (0..n as u64).collect();
        let engine = engine_with(&latencies, 1);
        assert_eq!(engine.raw_samples().len(), n);
        assert_eq!(engine.pre_aggregates().len(), n / 5);
    }
}

#[test]
fn remainder_waits_for_a_full_batch() {
    let mut engine = engine_with(&[5, 6, 7, 8], 1);
    assert_eq!(engine.pre_aggregates().len(), 0);
    assert_eq!(engine.sampled_points().len(), 0);
    engine.observe(9, 2_000);
    assert_eq!(engine.pre_aggregates().len(), 1);
    assert_eq!(engine.pre_aggregates()[0].window_start_time, 1_000);
}

#[test]
fn record_alone_makes_no_pre_aggregate() {
    let mut engine = SamplingEngine::new();
    for i in 0..12u64 {
        engine.record(i, 100 + i);
    }
    assert_eq!(engine.pre_aggregates().len(), 0);
    engine.update();
    assert_eq!(engine.pre_aggregates().len(), 2);
    assert_eq!(engine.window_cursor(), 2);
}

#[test]
fn scale_ladder_boundaries() {
    assert_eq!(select_scale(0), 5);
    assert_eq!(select_scale(300), 5);
    assert_eq!(select_scale(301), 15);
    assert_eq!(select_scale(1800), 15);
    assert_eq!(select_scale(1801), 30);
    assert_eq!(select_scale(3600), 30);
    assert_eq!(select_scale(3601), 60);
    assert_eq!(select_scale(7200), 60);
    assert_eq!(select_scale(7201), 120);
    assert_eq!(select_scale(14400), 120);
    assert_eq!(select_scale(14401), 240);
    assert_eq!(select_scale(28800), 240);
    assert_eq!(select_scale(28801), 480);
    assert_eq!(select_scale(57600), 480);
    assert_eq!(select_scale(57601), 960);
    assert_eq!(select_scale(115200), 960);
    assert_eq!(select_scale(115201), 1920);
    assert_eq!(select_scale(230400), 1920);
    assert_eq!(select_scale(230401), 3840);
    assert_eq!(select_scale(460800), 3840);
    assert_eq!(select_scale(460801), 7680);
    assert_eq!(select_scale(921600), 7680);
    assert_eq!(select_scale(921601), 15360);
    assert_eq!(select_scale(1843200), 15360);
    assert_eq!(select_scale(u64::MAX), 15360);
}

#[test]
fn scale_never_decreases() {
    let mut last = 0;
    let mut elapsed: u64 = 0;
    while elapsed < 2_000_000 {
        let scale = select_scale(elapsed);
        assert!(scale >= last);
        last = scale;
        elapsed += 97;
    }
}

#[test]
fn incremental_update_appends_one_point_per_window() {
    let engine = engine_with(&[10, 20, 15, 30, 25, 1, 2, 3, 4, 5], 1);
    assert_eq!(engine.scale(), 5);
    assert_eq!(
        engine.sampled_points(),
        &vec![
            SampledPoint { min_ms: 10, avg_ms: 20, max_ms: 30 },
            SampledPoint { min_ms: 1, avg_ms: 3, max_ms: 5 },
        ]
    );
}

#[test]
fn window_holds_every_pre_aggregate_within_the_scale() {
    let mut engine = SamplingEngine::new();
    let latencies: [u64; 15] = [10, 20, 15, 30, 25, 1, 2, 3, 4, 5, 100, 100, 100, 100, 103];
    for (i, latency) in latencies.iter().enumerate() {
        engine.record(*latency, 50 + i as u64);
    }
    engine.update();
    assert_eq!(engine.latency_time(), vec![50, 55, 60]);
    assert_eq!(
        engine.sampled_points(),
        &vec![
            SampledPoint { min_ms: 1, avg_ms: 11, max_ms: 30 },
            SampledPoint { min_ms: 100, avg_ms: 100, max_ms: 103 },
        ]
    );
    assert_eq!(engine.window_cursor(), 3);
}

#[test]
fn window_boundary_is_inclusive() {
    let mut engine = SamplingEngine::new();
    for i in 0..10u64 {
        engine.record(7, i);
    }
    engine.update();
    assert_eq!(engine.latency_time(), vec![0, 5]);
    assert_eq!(engine.sampled_points().len(), 1);

    let mut late = SamplingEngine::new();
    for i in 0..5u64 {
        late.record(7, i);
    }
    for i in 0..5u64 {
        late.record(9, 6 + i);
    }
    late.update();
    assert_eq!(late.latency_time(), vec![0, 6]);
    assert_eq!(
        late.sampled_points(),
        &vec![
            SampledPoint { min_ms: 7, avg_ms: 7, max_ms: 7 },
            SampledPoint { min_ms: 9, avg_ms: 9, max_ms: 9 },
        ]
    );
}

#[test]
fn scale_change_rebuilds_from_raw_history() {
    let mut engine = SamplingEngine::new();
    let mut n: u64 = 0;
    while n < 40 {
        engine.observe(10 + n, n * 10);
        assert_eq!(engine.scale(), if n * 10 <= 300 { 5 } else { 15 });
        if n == 31 {
            assert_eq!(engine.sampled_points().len(), 32 / 15);
            assert_eq!(engine.sampled_points(), &rebuild(engine.raw_samples(), 15));
            assert_eq!(
                engine.sampled_points(),
                &vec![
                    SampledPoint { min_ms: 10, avg_ms: 17, max_ms: 24 },
                    SampledPoint { min_ms: 25, avg_ms: 32, max_ms: 39 },
                ]
            );
        }
        n += 1;
    }
    assert_eq!(engine.pre_aggregates().len(), 8);
}

#[test]
fn rebuild_drops_the_partial_batch() {
    let engine = engine_with(&[4, 8, 6, 2, 10, 12, 14], 1);
    assert_eq!(
        rebuild(engine.raw_samples(), 5),
        vec![SampledPoint { min_ms: 2, avg_ms: 6, max_ms: 10 }]
    );
    assert_eq!(rebuild(engine.raw_samples(), 15), Vec::<SampledPoint>::new());
    assert_eq!(rebuild(engine.raw_samples(), 5).len(), 7 / 5);
}

#[test]
fn rebuilding_twice_gives_the_same_series() {
    let mut engine = engine_with(&[4, 8, 6, 2, 10, 12, 14, 1, 1, 1, 9], 2);
    engine.resample();
    let once = engine.sampled_points().clone();
    let cursor = engine.window_cursor();
    engine.resample();
    assert_eq!(engine.sampled_points(), &once);
    assert_eq!(engine.window_cursor(), cursor);
    assert_eq!(once.len(), 11 / 5);
}

#[test]
fn summarize_raw_of_a_run() {
    let engine = engine_with(&[4, 8, 6, 2, 10, 12, 14], 1);
    assert_eq!(
        summarize_raw(engine.raw_samples(), 1, 4),
        SampledPoint { min_ms: 2, avg_ms: 5, max_ms: 8 }
    );
}

#[test]
fn durations_are_clamped_to_the_sentinel() {
    assert_eq!(clamp_latency(0), 0);
    assert_eq!(clamp_latency(4999), 4999);
    assert_eq!(clamp_latency(5000), 5000);
    assert_eq!(clamp_latency(5001), 5000);
    assert_eq!(clamp_latency(70_000), 5000);
    assert_eq!(clamp_latency(u64::MAX), 5000);
}

#[test]
fn raw_samples_are_numbered_in_order() {
    let mut engine = SamplingEngine::new();
    let first = engine.record(12, 700);
    let second = engine.record(9000, 700);
    assert_eq!(first, RawSample { sequence: 0, latency_ms: 12, arrival_time: 700 });
    assert_eq!(second, RawSample { sequence: 1, latency_ms: 5000, arrival_time: 700 });
    assert_eq!(engine.raw_samples(), &vec![first, second]);
    assert_eq!(engine.data(), vec![12, 5000]);
    assert_eq!(engine.sys_time(), vec![700, 700]);
    assert_eq!(engine.elapsed_time(), 0);
}

#[test]
fn time_must_not_go_backwards() {
    let mut engine = SamplingEngine::new();
    assert!(engine.can_record(0));
    engine.record(1, 500);
    assert!(engine.can_record(500));
    assert!(engine.can_record(501));
    assert!(!engine.can_record(499));
}

#[test]
fn one_timeout_in_twelve_samples() {
    let mut latencies: Vec<u64> = vec![20; 12];
    latencies[7] = 5000;
    let engine = engine_with(&latencies, 1);
    let summary = engine.statistics();
    assert_eq!(engine.loss_count(), 1);
    assert_eq!(summary.lost, 1);
    assert_eq!(summary.transmitted, 12);
    assert_eq!(summary.received, 11);
    assert_eq!(loss_share(&summary), 833);
    let percent = summary.lost as f64 / summary.transmitted as f64 * 100.0;
    assert!((percent - 8.33).abs() < 0.01);
    assert_eq!(format!("{:.2}", percent), "8.33");
}

#[test]
fn statistics_over_all_samples() {
    let engine = engine_with(&[10, 20, 15, 30, 25, 6000, 7], 1);
    assert_eq!(
        engine.statistics(),
        Statistics { transmitted: 7, received: 6, lost: 1, min_ms: 7, avg_ms: 729, max_ms: 5000 }
    );
}

#[test]
fn columns_of_the_series() {
    let engine = engine_with(&[10, 20, 15, 30, 25, 1, 2, 3, 4, 5, 9], 1);
    assert_eq!(engine.data(), vec![10, 20, 15, 30, 25, 1, 2, 3, 4, 5, 9]);
    assert_eq!(engine.latency_time(), vec![1_000, 1_005]);
    assert_eq!(engine.pre_aggregate_column(rndiag::sampling::Trend::Min), vec![10, 1]);
    assert_eq!(engine.pre_aggregate_column(rndiag::sampling::Trend::Avg), vec![20, 3]);
    assert_eq!(engine.pre_aggregate_column(rndiag::sampling::Trend::Max), vec![30, 5]);
    assert_eq!(engine.sampled_column(rndiag::sampling::Trend::Min), vec![10, 1]);
    assert_eq!(engine.sampled_column(rndiag::sampling::Trend::Avg), vec![20, 3]);
    assert_eq!(engine.sampled_column(rndiag::sampling::Trend::Max), vec![30, 5]);
    assert_eq!(engine.last_average(), Some(3));
    assert_eq!(SamplingEngine::new().last_average(), None);
}

#[test]
fn lost_probes_are_counted_modulo_256() {
    assert_eq!(packet_received(&vec![5000, 12, 5000, 4999, 5001]), 2);
    assert_eq!(packet_received(&vec![]), 0);
    assert_eq!(packet_received(&vec![5000; 256]), 0);
    assert_eq!(packet_received(&vec![5000; 257]), 1);
}

#[test]
fn latency_levels() {
    assert_eq!(packet_latency(&0), 0);
    assert_eq!(packet_latency(&58), 0);
    assert_eq!(packet_latency(&59), 1);
    assert_eq!(packet_latency(&129), 1);
    assert_eq!(packet_latency(&130), 2);
    assert_eq!(packet_latency(&5000), 2);
}

#[test]
fn loss_share_is_rounded_down() {
    let summary = |lost: usize, transmitted: usize| Statistics {
        transmitted,
        received: transmitted - lost,
        lost,
        min_ms: 0,
        avg_ms: 0,
        max_ms: 0,
    };
    assert_eq!(loss_share(&summary(0, 7)), 0);
    assert_eq!(loss_share(&summary(7, 7)), 10000);
    assert_eq!(loss_share(&summary(2, 3)), 6666);
    assert_eq!(loss_share(&summary(0, 0)), 0);
    assert_eq!(loss_share(&summary(usize::MAX, usize::MAX)), 10000);
}
