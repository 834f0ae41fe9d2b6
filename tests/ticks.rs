use iced_plotter::ticks::{compute_ticks, nice_step, TickConfig};

#[test]
fn ticks_default_config_unit_range() {
    let t = compute_ticks(0, 10_000, &TickConfig::default());
    assert_eq!(t, vec![0, 2000, 4000, 6000, 8000, 10_000]);
}

#[test]
fn ticks_start_below_low_end_and_cover_high_end() {
    let t = compute_ticks(-1500, 2500, &TickConfig::default());
    assert_eq!(t, vec![-2000, -1000, 0, 1000, 2000]);
    assert!(t[0] <= -1500);
    let step = t[1] - t[0];
    assert!(*t.last().unwrap() <= 2500 && 2500 < t.last().unwrap() + step);
}

#[test]
fn ticks_are_ascending_with_nice_constant_step() {
    for (lo, hi) in [(3, 97), (-12_345, 67_890), (0, 1), (999, 1001), (-7, -3)] {
        let t = compute_ticks(lo, hi, &TickConfig { min_ticks: 3, max_ticks: 8 });
        assert!(t.len() >= 1);
        assert!(t[0] <= lo);
        if t.len() > 1 {
            let step = t[1] - t[0];
            for w in t.windows(2) {
                assert_eq!(w[1] - w[0], step);
            }
            let mut m = step;
            while m % 10 == 0 {
                m /= 10;
            }
            assert!(m == 1 || m == 2 || m == 5);
            assert!(*t.last().unwrap() <= hi && hi < t.last().unwrap() + step);
        }
    }
}

#[test]
fn ticks_degenerate_and_reversed_ranges() {
    assert_eq!(compute_ticks(5, 5, &TickConfig::default()), vec![5]);
    assert_eq!(
        compute_ticks(10_000, 0, &TickConfig::default()),
        compute_ticks(0, 10_000, &TickConfig::default())
    );
}

#[test]
fn nice_step_values() {
    assert_eq!(nice_step(10_000, 7), 2000);
    assert_eq!(nice_step(3, 2), 2);
    assert_eq!(nice_step(7, 7), 1);
    assert_eq!(nice_step(31, 7), 5);
    assert_eq!(nice_step(71, 7), 20);
}

#[test]
fn ticks_repeatable() {
    let c = TickConfig::default();
    assert_eq!(compute_ticks(-333, 777, &c), compute_ticks(-333, 777, &c));
}
