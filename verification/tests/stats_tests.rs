use rknn_driver::stats::{duration_stats, isqrt128, DurationStats};

#[test]
fn empty_sample_set_is_not_available() {
    let samples: Vec<u32> = Vec::new();
    assert_eq!(duration_stats(&samples), DurationStats::NotAvailable);
}

#[test]
fn single_sample_statistics() {
    let samples: Vec<u32> = vec![5];
    assert_eq!(
        duration_stats(&samples),
        DurationStats::Available { mean_centi: 500, min: 5, max: 5, sd_centi: 0 }
    );
}

#[test]
fn two_sample_statistics_exact() {
    // mean 3.00, sd 1.00
    let samples: Vec<u32> = vec![2, 4];
    assert_eq!(
        duration_stats(&samples),
        DurationStats::Available { mean_centi: 300, min: 2, max: 4, sd_centi: 100 }
    );
}

#[test]
fn four_sample_statistics_exact() {
    // mean 2.50; variance 1.25, sd 1.11.. truncated to hundredths
    let samples: Vec<u32> = vec![1, 2, 3, 4];
    assert_eq!(
        duration_stats(&samples),
        DurationStats::Available { mean_centi: 250, min: 1, max: 4, sd_centi: 111 }
    );
}

#[test]
fn mean_lies_between_min_and_max() {
    let samples: Vec<u32> = vec![10, 20, 30, 31, 7];
    match duration_stats(&samples) {
        DurationStats::Available { mean_centi, min, max, sd_centi } => {
            assert!(100 * (min as u64) <= mean_centi);
            assert!(mean_centi <= 100 * (max as u64));
            assert!(sd_centi <= 100 * (max as u64));
        }
        DurationStats::NotAvailable => panic!("statistics must exist for a non-empty set"),
    }
}

#[test]
fn identical_samples_have_zero_deviation() {
    let samples: Vec<u32> = vec![17, 17, 17];
    assert_eq!(
        duration_stats(&samples),
        DurationStats::Available { mean_centi: 1700, min: 17, max: 17, sd_centi: 0 }
    );
}

#[test]
fn isqrt_exact_values() {
    assert_eq!(isqrt128(0), 0);
    assert_eq!(isqrt128(1), 1);
    assert_eq!(isqrt128(3), 1);
    assert_eq!(isqrt128(4), 2);
    assert_eq!(isqrt128(12500), 111);
    assert_eq!(isqrt128(u64::MAX as u128), 0xffff_ffff);
    assert_eq!(isqrt128((1u128 << 100) - 1), (1u128 << 50) - 1);
}
